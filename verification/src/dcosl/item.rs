//! List coordinates and the tags of list items.
use vstd::prelude::*;

use crate::dcosl::error::DcoslError;
use crate::dcosl::query::coordinate_of;
use crate::event::{
    lemma_public_key_hex_roundtrip, spec_parse_public_key, strings_view, tags_view, PublicKey, Tag,
};
use crate::text::{
    decimal, hex_encode, is_hex_string, lemma_decimal_has_no, lemma_hex_roundtrip,
    lemma_parse_decimal, lemma_split_once_at, parse_u16, push_decimal, split_once,
    split_once_char, unsigned_from_str,
};

verus! {

/// What a coordinate `kind:pubkey:d-tag` denotes: the kind, the key bytes and
/// the d-tag, which is everything after the second colon.
pub open spec fn spec_parse_coordinate(s: Seq<char>) -> Option<(u16, Seq<u8>, Seq<char>)> {
    match split_once(s, ':') {
        None => None,
        Some((kind_text, rest)) => match split_once(rest, ':') {
            None => None,
            Some((key_text, d_tag)) => match unsigned_from_str(kind_text, u16::MAX as nat) {
                None => None,
                Some(kind) => match spec_parse_public_key(key_text) {
                    None => None,
                    Some(key) => Some((kind as u16, key, d_tag)),
                },
            },
        },
    }
}

/// Parse a coordinate string of the form `kind:pubkey:d-tag`.
pub fn parse_coordinate_str(input: &str) -> (r: Result<(u16, PublicKey, String), DcoslError>)
    ensures
        match r {
            Ok((kind, key, d_tag)) => spec_parse_coordinate(input@) == Some((kind, key@, d_tag@)),
            Err(e) => spec_parse_coordinate(input@) is None && (e matches DcoslError::InvalidCoordinate {
                input: i,
            } && i@ == input@),
        },
{
    let (kind_text, rest) = match split_once_char(input, ':') {
        Some(p) => p,
        None => return Err(DcoslError::InvalidCoordinate { input: String::from_str(input) }),
    };
    let (key_text, d_tag) = match split_once_char(rest.as_str(), ':') {
        Some(p) => p,
        None => return Err(DcoslError::InvalidCoordinate { input: String::from_str(input) }),
    };
    let kind = match parse_u16(kind_text.as_str()) {
        Some(k) => k,
        None => return Err(DcoslError::InvalidCoordinate { input: String::from_str(input) }),
    };
    let key = match PublicKey::parse(key_text.as_str()) {
        Some(k) => k,
        None => return Err(DcoslError::InvalidCoordinate { input: String::from_str(input) }),
    };
    Ok((kind, key, d_tag))
}

/// Parameters for publishing a list item.
pub struct ItemParams {
    pub header: Option<String>,
    pub header_coordinate: Option<String>,
    pub resource: String,
    pub content: Option<String>,
    pub fields: Vec<String>,
    pub addressable: bool,
    pub d_tag: Option<String>,
}

/// Tags made of `key=value` fields, in order; fields without `=` are skipped.
pub open spec fn field_tags(fields: Seq<Seq<char>>) -> Seq<Seq<Seq<char>>>
    decreases fields.len(),
{
    if fields.len() == 0 {
        seq![]
    } else {
        field_tags(fields.drop_last()) + match split_once(fields.last(), '=') {
            Some((key, value)) => seq![seq![key, value]],
            None => seq![],
        }
    }
}

/// The tags of a list item: parent reference, resource, optional client,
/// the `key=value` fields, then the optional d-tag.
pub open spec fn item_tags(
    parent_z_ref: Seq<char>,
    resource: Seq<char>,
    fields: Seq<Seq<char>>,
    d_tag: Option<Seq<char>>,
    client_name: Option<Seq<char>>,
) -> Seq<Seq<Seq<char>>> {
    seq![seq!["z"@, parent_z_ref], seq!["r"@, resource]] + match client_name {
        Some(c) => seq![seq!["client"@, c]],
        None => seq![],
    } + field_tags(fields) + match d_tag {
        Some(d) => seq![seq!["d"@, d]],
        None => seq![],
    }
}

/// The view of an optional string slice.
pub open spec fn opt_str_view(o: Option<&str>) -> Option<Seq<char>> {
    match o {
        Some(s) => Some(s@),
        None => None,
    }
}

/// Build the tags of a list item.
pub fn build_item_tags(
    parent_z_ref: &str,
    resource: &str,
    fields: &[String],
    d_tag: Option<&str>,
    client_name: Option<&str>,
) -> (tags: Vec<Tag>)
    ensures
        tags_view(tags@) == item_tags(
            parent_z_ref@,
            resource@,
            strings_view(fields@),
            opt_str_view(d_tag),
            opt_str_view(client_name),
        ),
{
    let mut event_tags: Vec<Tag> = Vec::new();
    event_tags.push(Tag::custom("z", parent_z_ref));
    event_tags.push(Tag::custom("r", resource));
    if let Some(client) = client_name {
        event_tags.push(Tag::custom("client", client));
    }
    let ghost head = tags_view(event_tags@);
    assert(head =~= seq![seq!["z"@, parent_z_ref@], seq!["r"@, resource@]] + match client_name {
        Some(c) => seq![seq!["client"@, c@]],
        None => Seq::<Seq<Seq<char>>>::empty(),
    });
    assert(field_tags(strings_view(fields@).take(0)) =~= Seq::<Seq<Seq<char>>>::empty());
    let mut i: usize = 0;
    while i < fields.len()
        invariant
            i <= fields@.len(),
            tags_view(event_tags@) == head + field_tags(
                strings_view(fields@).take(i as int),
            ),
        decreases fields@.len() - i,
    {
        let ghost before = tags_view(event_tags@);
        let ghost fs = strings_view(fields@);
        proof {
            assert(fs.take(i + 1).drop_last() =~= fs.take(i as int));
            assert(fs.take(i + 1).last() == fields@[i as int]@);
            assert(field_tags(fs.take(i + 1)) == field_tags(fs.take(i as int)) + match split_once(
                fields@[i as int]@,
                '=',
            ) {
                Some((key, value)) => seq![seq![key, value]],
                None => Seq::<Seq<Seq<char>>>::empty(),
            });
        }
        match split_once_char(fields[i].as_str(), '=') {
            Some((key, value)) => {
                let t = Tag::custom(key.as_str(), value.as_str());
                event_tags.push(t);
                assert(tags_view(event_tags@) =~= before.push(seq![key@, value@]));
            },
            None => {
                assert(tags_view(event_tags@) =~= before);
            },
        }
        assert(tags_view(event_tags@) =~= head + field_tags(fs.take(i + 1)));
        i = i + 1;
    }
    assert(strings_view(fields@).take(fields@.len() as int) =~= strings_view(fields@));
    let ghost middle = tags_view(event_tags@);
    if let Some(d) = d_tag {
        let t = Tag::identifier(d);
        event_tags.push(t);
        assert(tags_view(event_tags@) =~= middle.push(seq![seq!['d'], d@]));
    } else {
        assert(tags_view(event_tags@) =~= middle);
    }
    proof {
        reveal_strlit("d");
        assert("d"@ =~= seq!['d']);
        assert(tags_view(event_tags@) =~= item_tags(
            parent_z_ref@,
            resource@,
            strings_view(fields@),
            opt_str_view(d_tag),
            opt_str_view(client_name),
        ));
    }
    event_tags
}

/// The message returned when an item names no parent list.
pub open spec fn missing_header_message() -> Seq<char> {
    "Specify --header=<event-id> or --header-coordinate=<kind:pubkey:d-tag>"@
}

/// Validate that either `header` or `header_coordinate` is provided.
pub fn validate_item_params(params: &ItemParams) -> (r: Result<(), String>)
    ensures
        r is Ok <==> (params.header is Some || params.header_coordinate is Some),
        r matches Err(m) ==> m@ == missing_header_message(),
{
    if params.header.is_none() && params.header_coordinate.is_none() {
        return Err(
            String::from_str(
                "Specify --header=<event-id> or --header-coordinate=<kind:pubkey:d-tag>",
            ),
        );
    }
    Ok(())
}

/// The text `kind:pubkey:d` of a coordinate, with the key in lowercase hex.
pub fn coordinate_string(kind: u16, pubkey: &PublicKey, d_tag: &str) -> (s: String)
    ensures
        s@ == coordinate_of(kind, pubkey@, d_tag@),
{
    let mut s = String::new();
    push_decimal(&mut s, kind as u64);
    s.append(":");
    let key = pubkey.to_hex();
    s.append(key.as_str());
    s.append(":");
    s.append(d_tag);
    s
}

/// A coordinate written out by `coordinate_string` parses back into the same
/// kind, key and d-tag, whatever the d-tag holds.
pub proof fn lemma_coordinate_roundtrip(kind: u16, pubkey: PublicKey, d_tag: Seq<char>)
    ensures
        spec_parse_coordinate(coordinate_of(kind, pubkey@, d_tag)) == Some((kind, pubkey@, d_tag)),
{
    let k = decimal(kind as nat);
    let h = hex_encode(pubkey@);
    reveal_strlit(":");
    lemma_decimal_has_no(kind as nat, ':');
    lemma_public_key_hex_roundtrip(pubkey);
    lemma_hex_roundtrip(pubkey@);
    assert(!h.contains(':')) by {
        if h.contains(':') {
            let i = choose|i: int| 0 <= i < h.len() && h[i] == ':';
            assert(is_hex_string(h));
        }
    }
    let rest = h + seq![':'] + d_tag;
    assert(coordinate_of(kind, pubkey@, d_tag) =~= k + seq![':'] + rest);
    lemma_split_once_at(k, ':', rest);
    lemma_split_once_at(h, ':', d_tag);
    lemma_parse_decimal(kind as nat, u16::MAX as nat);
}

} // verus!
