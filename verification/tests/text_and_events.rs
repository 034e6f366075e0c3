use magic_carpet::dcosl::error::DcoslError;
use magic_carpet::event::{PublicKey, Tag};
use magic_carpet::text::{
    concat2, hex_string, parse_u16, parse_u64, split_once_char, str_eq, str_lt, trim_end_matches_char,
    u64_to_decimal,
};
use nostr::nips::nip19::ToBech32;

#[test]
fn decimal_and_hex() {
    assert_eq!(u64_to_decimal(0), "0");
    assert_eq!(u64_to_decimal(9734), "9734");
    assert_eq!(hex_string(&[0x00, 0xab, 0xff]), "00abff");
    assert_eq!(parse_u16("65535"), Some(65535));
    assert_eq!(parse_u16("65536"), None);
    assert_eq!(parse_u64("-1"), None);
}

#[test]
fn splitting_and_comparing() {
    assert_eq!(split_once_char("a:b:c", ':'), Some(("a".to_string(), "b:c".to_string())));
    assert_eq!(split_once_char("abc", ':'), None);
    assert_eq!(trim_end_matches_char("x///", '/'), "x");
    assert!(str_eq("same", "same"));
    assert!(str_lt("a", "b") && str_lt("a", "ab") && !str_lt("b", "a"));
    assert_eq!(concat2("ab", "cd"), "abcd");
}

#[test]
fn public_keys_parse_in_every_notation() {
    let keys = nostr::Keys::generate();
    let hex = keys.public_key().to_hex();
    let pk = PublicKey::parse(&hex).unwrap();
    assert_eq!(pk.bytes, keys.public_key().to_bytes());
    assert_eq!(pk.to_hex(), hex);
    let npub = keys.public_key().to_bech32().unwrap();
    assert_eq!(PublicKey::parse(&npub).unwrap(), pk);
    assert_eq!(PublicKey::parse(&format!("nostr:{npub}")).unwrap(), pk);
    assert!(PublicKey::parse("not-a-key").is_none());
    assert!(PublicKey::parse(&hex[..63]).is_none());
}

#[test]
fn tags_and_errors() {
    assert_eq!(Tag::custom("t", "books").parts, vec!["t", "books"]);
    assert_eq!(Tag::identifier("x").as_slice(), &["d".to_string(), "x".to_string()]);
    let e = DcoslError::InvalidEventId { id: "zz".into() };
    assert_eq!(e.code(), "INVALID_EVENT_ID");
    assert_eq!(e.message(), "Invalid event ID: zz");
    assert!(!e.retryable());
    assert_eq!(DcoslError::HeaderMissingDTag.code(), "HEADER_MISSING_D_TAG");
}
