use magic_carpet::dcosl::item::{build_item_tags, coordinate_string, parse_coordinate_str, validate_item_params, ItemParams};
use magic_carpet::event::{PublicKey, Tag};
use nostr::nips::nip19::ToBech32;

fn test_pubkey_hex() -> String {
    nostr::Keys::generate().public_key().to_hex()
}

#[test]
fn parse_coordinate_valid() {
    let pk = test_pubkey_hex();
    let input = format!("39998:{pk}:my-list");
    let (kind, pubkey, d_tag) = parse_coordinate_str(&input).unwrap();
    assert_eq!(kind, 39998);
    assert_eq!(pubkey.to_hex(), pk);
    assert_eq!(d_tag, "my-list");
}

#[test]
fn parse_coordinate_too_few_parts() {
    let err = parse_coordinate_str("39998:abc").unwrap_err();
    assert_eq!(err.code(), "INVALID_COORDINATE");
}

#[test]
fn parse_coordinate_single_part() {
    let err = parse_coordinate_str("just-one").unwrap_err();
    assert_eq!(err.code(), "INVALID_COORDINATE");
}

#[test]
fn parse_coordinate_invalid_kind() {
    let pk = test_pubkey_hex();
    let input = format!("notnum:{pk}:d");
    let err = parse_coordinate_str(&input).unwrap_err();
    assert_eq!(err.code(), "INVALID_COORDINATE");
}

#[test]
fn parse_coordinate_invalid_pubkey() {
    let err = parse_coordinate_str("39998:not-a-pubkey:d").unwrap_err();
    assert_eq!(err.code(), "INVALID_COORDINATE");
}

#[test]
fn parse_coordinate_d_tag_with_colons_preserved() {
    let pk = test_pubkey_hex();
    let input = format!("39998:{pk}:d:tag:with:colons");
    let (_, _, d_tag) = parse_coordinate_str(&input).unwrap();
    assert_eq!(d_tag, "d:tag:with:colons");
}

#[test]
fn parse_coordinate_empty_d_tag() {
    let pk = test_pubkey_hex();
    let input = format!("39998:{pk}:");
    let (_, _, d_tag) = parse_coordinate_str(&input).unwrap();
    assert_eq!(d_tag, "");
}

#[test]
fn parse_coordinate_kind_out_of_range_errors() {
    let pk = test_pubkey_hex();
    let err = parse_coordinate_str(&format!("65536:{pk}:d")).unwrap_err();
    assert_eq!(err.code(), "INVALID_COORDINATE");
    assert_eq!(
        err.message(),
        format!("Invalid coordinate format: 65536:{pk}:d \u{2014} expected kind:pubkey:d-tag")
    );
}

#[test]
fn parse_coordinate_accepts_npub_and_uppercase_hex() {
    let keys = nostr::Keys::generate();
    let hex = keys.public_key().to_hex();
    let npub = keys.public_key().to_bech32().unwrap();
    let (_, from_npub, _) = parse_coordinate_str(&format!("1:{npub}:x")).unwrap();
    assert_eq!(from_npub.to_hex(), hex);
    let (_, from_upper, _) = parse_coordinate_str(&format!("1:{}:x", hex.to_uppercase())).unwrap();
    assert_eq!(from_upper.to_hex(), hex);
}

#[test]
fn coordinate_string_round_trips() {
    let bytes = nostr::Keys::generate().public_key().to_bytes();
    let pk = PublicKey { bytes };
    let text = coordinate_string(9998, &pk, "a:b");
    assert_eq!(text, format!("9998:{}:a:b", pk.to_hex()));
    let (kind, back, d) = parse_coordinate_str(&text).unwrap();
    assert_eq!(kind, 9998);
    assert_eq!(back, pk);
    assert_eq!(d, "a:b");
}

fn base_params(header: Option<String>, header_coordinate: Option<String>) -> ItemParams {
    ItemParams {
        header,
        header_coordinate,
        resource: "https://example.com".into(),
        content: None,
        fields: vec![],
        addressable: false,
        d_tag: None,
    }
}

#[test]
fn validate_header_only_ok() {
    let p = base_params(Some("abc123".into()), None);
    assert!(validate_item_params(&p).is_ok());
}

#[test]
fn validate_coordinate_only_ok() {
    let p = base_params(None, Some("39998:pk:d".into()));
    assert!(validate_item_params(&p).is_ok());
}

#[test]
fn validate_neither_header_nor_coordinate_errors() {
    let p = base_params(None, None);
    assert!(validate_item_params(&p).is_err());
}

#[test]
fn validate_neither_gives_the_hint() {
    let p = base_params(None, None);
    assert_eq!(
        validate_item_params(&p).unwrap_err(),
        "Specify --header=<event-id> or --header-coordinate=<kind:pubkey:d-tag>"
    );
}

fn find_tag<'a>(tags: &'a [Tag], kind_str: &str) -> Option<&'a Tag> {
    tags.iter().find(|t| t.as_slice().first().map(String::as_str) == Some(kind_str))
}

fn tag_values(tag: &Tag) -> Vec<String> {
    tag.as_slice().iter().map(ToString::to_string).collect()
}

#[test]
fn build_item_tags_has_parent_z_ref() {
    let tags = build_item_tags("abc123", "https://example.com", &[], None, None);
    let z = find_tag(&tags, "z").expect("z tag missing");
    assert_eq!(tag_values(z), vec!["z", "abc123"]);
}

#[test]
fn build_item_tags_has_resource() {
    let tags = build_item_tags("abc123", "https://example.com", &[], None, None);
    let r = find_tag(&tags, "r").expect("r tag missing");
    assert_eq!(tag_values(r), vec!["r", "https://example.com"]);
}

#[test]
fn build_item_tags_has_client_when_set() {
    let tags = build_item_tags("abc123", "https://example.com", &[], None, Some("test"));
    let c = find_tag(&tags, "client").expect("client tag missing");
    assert_eq!(tag_values(c), vec!["client", "test"]);
}

#[test]
fn build_item_tags_no_client_when_none() {
    let tags = build_item_tags("abc123", "https://example.com", &[], None, None);
    assert!(find_tag(&tags, "client").is_none());
}

#[test]
fn build_item_tags_fields_with_equals_become_tags() {
    let fields = vec!["color=red".to_string(), "size=large".to_string()];
    let tags = build_item_tags("abc123", "https://example.com", &fields, None, None);
    let color = find_tag(&tags, "color").expect("color tag missing");
    assert_eq!(tag_values(color), vec!["color", "red"]);
    let size = find_tag(&tags, "size").expect("size tag missing");
    assert_eq!(tag_values(size), vec!["size", "large"]);
}

#[test]
fn build_item_tags_fields_without_equals_skipped() {
    let fields = vec!["no-equals-here".to_string()];
    let tags = build_item_tags("abc123", "https://example.com", &fields, None, None);
    assert_eq!(tags.len(), 2);
}

#[test]
fn build_item_tags_d_tag_present() {
    let tags = build_item_tags("abc123", "https://example.com", &[], Some("my-item"), None);
    let d = find_tag(&tags, "d").expect("d tag missing");
    assert_eq!(tag_values(d), vec!["d", "my-item"]);
}

#[test]
fn build_item_tags_d_tag_absent() {
    let tags = build_item_tags("abc123", "https://example.com", &[], None, None);
    assert!(find_tag(&tags, "d").is_none());
}

#[test]
fn build_item_tags_field_splits_at_first_equals() {
    let fields = vec!["k=a=b".to_string()];
    let tags = build_item_tags("z", "r", &fields, None, None);
    assert_eq!(tag_values(&tags[2]), vec!["k", "a=b"]);
}
